use vstd::prelude::*;
use vstd::utf8::{decode_utf8, valid_utf8};

use crate::classify::{classify_error, error_class};
use crate::cstr::{cstr_to_string, decimal, decimal_chars, not_utf8_message, null_pointer_message};
use crate::session::{opt_view, LlamaXetSession};
use crate::last_error::{clear, lemma_stored_message_nonempty, stored_message, LastError};
use crate::status::{Failure, LXET_ERR_INVALID_ARG, LXET_OK};

verus! {

/// One file of a batch download, ready for the download group: the xet
/// hash, the size when known, and the destination path.
pub struct FileRequest {
    pub hash: String,
    pub file_size: Option<u64>,
    pub dest_path: String,
}

/// The size a descriptor's `file_size` stands for: 0 means "unknown".
pub open spec fn known_size(file_size: u64) -> Option<u64> {
    if file_size == 0 {
        None
    } else {
        Some(file_size)
    }
}

impl FileRequest {
    /// This request was made from a descriptor with these fields.
    pub open spec fn describes(&self, hash: Seq<u8>, file_size: u64, dest_path: Seq<u8>) -> bool {
        &&& self.hash@ == decode_utf8(hash)
        &&& self.file_size == known_size(file_size)
        &&& self.dest_path@ == decode_utf8(dest_path)
    }

    /// Both requests name the same file, size and destination.
    pub open spec fn same(&self, other: FileRequest) -> bool {
        &&& self.hash@ == other.hash@
        &&& self.file_size == other.file_size
        &&& self.dest_path@ == other.dest_path@
    }

    /// A copy of this request.
    pub fn duplicate(&self) -> (r: FileRequest)
        ensures
            r.same(*self),
    {
        FileRequest {
            hash: self.hash.clone(),
            file_size: self.file_size,
            dest_path: self.dest_path.clone(),
        }
    }
}

/// Optional bytes by their view.
pub open spec fn opt_bytes(p: Option<&[u8]>) -> Option<Seq<u8>> {
    match p {
        Some(b) => Some(b@),
        None => None,
    }
}

/// How the `index`-th descriptor's hash is named in messages.
pub open spec fn hash_field(index: nat) -> Seq<char> {
    "files["@ + decimal_chars(index) + "].hash"@
}

/// How the `index`-th descriptor's destination is named in messages.
pub open spec fn dest_field(index: nat) -> Seq<char> {
    "files["@ + decimal_chars(index) + "].dest_path"@
}

/// What is wrong with a required C-string argument named `what`, if anything.
pub open spec fn text_problem(p: Option<Seq<u8>>, what: Seq<char>) -> Option<Seq<char>> {
    match p {
        None => Some(null_pointer_message(what)),
        Some(b) => if valid_utf8(b) {
            None
        } else {
            Some(not_utf8_message(what))
        },
    }
}

/// What is wrong with the `index`-th descriptor, if anything: its hash is
/// checked before its destination.
pub open spec fn file_problem(index: nat, hash: Option<Seq<u8>>, dest_path: Option<Seq<u8>>) -> Option<
    Seq<char>,
> {
    match text_problem(hash, hash_field(index)) {
        Some(m) => Some(m),
        None => text_problem(dest_path, dest_field(index)),
    }
}

fn field_name(index: usize, suffix: &str) -> (r: String)
    ensures
        r@ == "files["@ + decimal_chars(index as nat) + suffix@,
{
    let mut name = "files[".to_owned();
    name.append(decimal(index).as_str());
    name.append(suffix);
    name
}

/// Turns the `index`-th C descriptor into a request: hash and destination
/// must be non-NULL UTF-8 strings (`None` stands for NULL), and a size of 0
/// means the size is unknown.
pub fn marshal_file(index: usize, hash: Option<&[u8]>, file_size: u64, dest_path: Option<&[u8]>) -> (r:
    Result<FileRequest, Failure>)
    ensures
        match file_problem(index as nat, opt_bytes(hash), opt_bytes(dest_path)) {
            Some(m) => r matches Err(f) && f.code == LXET_ERR_INVALID_ARG && f.message@ == m,
            None => r matches Ok(q) && q.describes(hash.unwrap()@, file_size, dest_path.unwrap()@),
        },
        match r {
            Ok(q) => (file_size == 0 ==> q.file_size is None) && (file_size != 0 ==> q.file_size
                == Some(file_size)) && q.hash@ == decode_utf8(hash.unwrap()@) && q.dest_path@
                == decode_utf8(dest_path.unwrap()@),
            Err(f) => f.code == LXET_ERR_INVALID_ARG,
        },
{
    let hash_name = field_name(index, "].hash");
    let hash_text = match cstr_to_string(hash, hash_name.as_str()) {
        Ok(s) => s,
        Err(f) => return Err(f),
    };
    let dest_name = field_name(index, "].dest_path");
    let dest_text = match cstr_to_string(dest_path, dest_name.as_str()) {
        Ok(s) => s,
        Err(f) => return Err(f),
    };
    let size = if file_size == 0 {
        None
    } else {
        Some(file_size)
    };
    Ok(FileRequest { hash: hash_text, file_size: size, dest_path: dest_text })
}

} // verus!

verus! {

/// How a download group authenticates against the CAS server.
pub enum GroupAuth {
    /// Fetch (and refresh) CAS tokens from this URL.
    RefreshUrl(String),
    /// Use this static token, valid until the given expiry; with no refresh
    /// URL the library treats it as "refresh disabled".
    StaticToken(String, u64),
    /// No credentials: anonymous access.
    Anonymous,
}

/// What a download group is configured with before it is built.
pub struct GroupConfig {
    pub endpoint: Option<String>,
    pub auth: GroupAuth,
}

impl GroupAuth {
    /// Both name the same kind of credential with the same text and expiry.
    pub open spec fn same(&self, other: GroupAuth) -> bool {
        match (*self, other) {
            (GroupAuth::RefreshUrl(a), GroupAuth::RefreshUrl(b)) => a@ == b@,
            (GroupAuth::StaticToken(a, x), GroupAuth::StaticToken(b, y)) => a@ == b@ && x == y,
            (GroupAuth::Anonymous, GroupAuth::Anonymous) => true,
            _ => false,
        }
    }

    fn duplicate(&self) -> (r: GroupAuth)
        ensures
            r.same(*self),
    {
        match self {
            GroupAuth::RefreshUrl(u) => GroupAuth::RefreshUrl(u.clone()),
            GroupAuth::StaticToken(t, e) => GroupAuth::StaticToken(t.clone(), *e),
            GroupAuth::Anonymous => GroupAuth::Anonymous,
        }
    }
}

fn duplicate_opt(s: &Option<String>) -> (r: Option<String>)
    ensures
        opt_view(r) == opt_view(*s),
{
    match s {
        Some(t) => Some(t.clone()),
        None => None,
    }
}

impl GroupConfig {
    /// The configuration a session with these strings asks for: its endpoint
    /// when given; a token refresh URL wins over a bearer token, which is used
    /// as a static token that never expires; with neither, anonymous access.
    pub open spec fn conforms(
        &self,
        endpoint: Option<Seq<char>>,
        bearer_token: Option<Seq<char>>,
        token_refresh_url: Option<Seq<char>>,
    ) -> bool {
        &&& opt_view(self.endpoint) == endpoint
        &&& match token_refresh_url {
            Some(url) => self.auth matches GroupAuth::RefreshUrl(u) && u@ == url,
            None => match bearer_token {
                Some(token) => self.auth matches GroupAuth::StaticToken(t, expiry) && t@ == token
                    && expiry == u64::MAX,
                None => self.auth is Anonymous,
            },
        }
    }

    /// Both configurations say the same.
    pub open spec fn same(&self, other: GroupConfig) -> bool {
        &&& opt_view(self.endpoint) == opt_view(other.endpoint)
        &&& self.auth.same(other.auth)
    }

    /// A copy of this configuration.
    pub fn duplicate(&self) -> (r: GroupConfig)
        ensures
            r.same(*self),
    {
        GroupConfig { endpoint: duplicate_opt(&self.endpoint), auth: self.auth.duplicate() }
    }
}

/// The download group configuration for a session's stored endpoint and
/// credentials.
pub fn group_config(session: &LlamaXetSession) -> (c: GroupConfig)
    ensures
        c.conforms(
            opt_view(session.endpoint),
            opt_view(session.bearer_token),
            opt_view(session.token_refresh_url),
        ),
        opt_view(c.endpoint) == opt_view(session.endpoint),
        match session.token_refresh_url {
            Some(url) => match c.auth {
                GroupAuth::RefreshUrl(u) => u@ == url@,
                _ => false,
            },
            None => match session.bearer_token {
                Some(token) => match c.auth {
                    GroupAuth::StaticToken(t, expiry) => t@ == token@ && expiry == u64::MAX,
                    _ => false,
                },
                None => c.auth is Anonymous,
            },
        },
{
    let auth = match &session.token_refresh_url {
        Some(url) => GroupAuth::RefreshUrl(url.clone()),
        None => match &session.bearer_token {
            Some(token) => GroupAuth::StaticToken(token.clone(), u64::MAX),
            None => GroupAuth::Anonymous,
        },
    };
    GroupConfig { endpoint: duplicate_opt(&session.endpoint), auth }
}

/// The steps of a batch download whose failure is reported with the
/// library's own error text.
pub enum Stage {
    /// Asking the session for a new file download group.
    NewGroup,
    /// Building the configured group.
    Build,
    /// Queueing one file on the group.
    Enqueue,
    /// Waiting for the group to finish.
    Finish,
}

/// The label that opens the message of a failure at `stage`.
pub open spec fn stage_label(stage: Stage) -> Seq<char> {
    match stage {
        Stage::NewGroup => "new_file_download_group"@,
        Stage::Build => "group build"@,
        Stage::Enqueue => "enqueue"@,
        Stage::Finish => "finish"@,
    }
}

/// The message of a failure at `stage` whose own text is `detail`.
pub open spec fn stage_message(stage: Stage, detail: Seq<char>) -> Seq<char> {
    stage_label(stage) + ": "@ + detail
}

fn stage_label_str(stage: &Stage) -> (s: &'static str)
    ensures
        s@ == stage_label(*stage),
{
    match stage {
        Stage::NewGroup => "new_file_download_group",
        Stage::Build => "group build",
        Stage::Enqueue => "enqueue",
        Stage::Finish => "finish",
    }
}

/// The failure reported when `stage` fails with the error text `detail`:
/// the message is the stage's label, ": " and the text, and the code is the
/// message's classification.
pub fn stage_failure(stage: Stage, detail: &str) -> (f: Failure)
    ensures
        f.message@ == stage_message(stage, detail@),
        f.code == error_class(f.message@),
{
    let mut message = stage_label_str(&stage).to_owned();
    message.append(": ");
    message.append(detail);
    let code = classify_error(message.as_str());
    Failure { code, message }
}

} // verus!

verus! {

/// Where a batch download stands.
pub enum Phase {
    /// Reading the C descriptors, one at a time.
    ReadingFiles,
    /// Every descriptor is read; the download group is to be created.
    CreatingGroup,
    /// The group exists and is to be configured and built.
    BuildingGroup,
    /// The group is built; files are being queued, in order.
    Enqueuing,
    /// Every file is queued; waiting for the group to finish.
    Awaiting,
    /// The call is over.
    Done,
}

/// What the caller reports back after carrying out an action.
pub enum DownloadEvent {
    /// The descriptor asked for by `ReadFile`: its hash and destination bytes
    /// (`None` for a NULL pointer) and its size field.
    FileRead { hash: Option<Vec<u8>>, file_size: u64, dest_path: Option<Vec<u8>> },
    /// The session answered the request for a new group (with its error text
    /// on failure).
    GroupCreated(Result<(), String>),
    /// The configured group was built, or its error text.
    GroupBuilt(Result<(), String>),
    /// The file asked for by `Enqueue` was queued, or the error text.
    Enqueued(Result<(), String>),
    /// The group finished: the total number of bytes, or the error text.
    Finished(Result<u64, String>),
}

/// How the call ends: the code it returns, the message to leave in the
/// thread's last-error slot, and the byte count to report once more to the
/// progress callback, if any.
pub struct Outcome {
    pub code: i32,
    pub error: Option<String>,
    pub final_progress: Option<u64>,
}

/// What the caller is to do next.
pub enum DownloadAction {
    /// Read the descriptor with this index.
    ReadFile(usize),
    /// Ask the session for a new file download group.
    CreateGroup,
    /// Configure the group with this configuration and build it.
    BuildGroup(GroupConfig),
    /// Queue this file on the group.
    Enqueue(FileRequest),
    /// Start progress reporting and wait for the group to finish.
    AwaitCompletion,
    /// Return this outcome.
    Complete(Outcome),
}

/// The decisions of a batch download, one step per event: argument checks,
/// descriptor marshalling, group configuration, queueing every file in
/// order, and the classification of whatever fails.
pub struct DownloadDriver {
    pub phase: Phase,
    pub file_count: usize,
    pub config: GroupConfig,
    pub files: Vec<FileRequest>,
    pub queued: usize,
}

/// Optional owned bytes by their view.
pub open spec fn opt_vec(p: Option<Vec<u8>>) -> Option<Seq<u8>> {
    match p {
        Some(b) => Some(b@),
        None => None,
    }
}

/// The action ends the call with `code`, leaving `message` in the slot.
pub open spec fn fails_with(action: DownloadAction, code: i32, message: Seq<char>) -> bool {
    match action {
        DownloadAction::Complete(o) => o.code == code && o.final_progress is None && match o.error {
            Some(m) => m@ == message,
            None => false,
        },
        _ => false,
    }
}

/// The action builds the group with a copy of `config`.
pub open spec fn builds(action: DownloadAction, config: GroupConfig) -> bool {
    match action {
        DownloadAction::BuildGroup(c) => c.same(config),
        _ => false,
    }
}

/// The action queues a copy of `file`.
pub open spec fn enqueues(action: DownloadAction, file: FileRequest) -> bool {
    match action {
        DownloadAction::Enqueue(q) => q.same(file),
        _ => false,
    }
}

/// The action ends the call as a failure of `stage` with error text `detail`.
pub open spec fn stage_failed(action: DownloadAction, stage: Stage, detail: Seq<char>) -> bool {
    fails_with(action, error_class(stage_message(stage, detail)), stage_message(stage, detail))
}

/// The action ends the call successfully, reporting `progress` once more.
pub open spec fn succeeds_with(action: DownloadAction, progress: Option<u64>) -> bool {
    match action {
        DownloadAction::Complete(o) => o.code == LXET_OK && o.error is None && o.final_progress
            == progress,
        _ => false,
    }
}

/// If the action ends the call, it succeeds exactly when it leaves no
/// message, and any message it leaves is non-empty.
pub open spec fn settled_outcome(action: DownloadAction) -> bool {
    match action {
        DownloadAction::Complete(o) => (o.code == LXET_OK <==> o.error is None) && match o.error {
            Some(m) => m@.len() > 0,
            None => true,
        },
        _ => true,
    }
}

/// The fixed texts that every failure message of a batch download contains
/// are non-empty.
proof fn lemma_failure_texts_nonempty()
    ensures
        "session is NULL"@.len() > 0,
        "files is NULL but file_count > 0"@.len() > 0,
        " pointer is NULL"@.len() > 0,
        " is not valid UTF-8"@.len() > 0,
        ": "@.len() > 0,
{
    reveal_strlit("session is NULL");
    reveal_strlit("files is NULL but file_count > 0");
    reveal_strlit(" pointer is NULL");
    reveal_strlit(" is not valid UTF-8");
    reveal_strlit(": ");
}

/// The action ends the call with `LXET_ERR_INVALID_ARG`.
pub open spec fn ends_invalid(action: DownloadAction) -> bool {
    match action {
        DownloadAction::Complete(o) => o.code == LXET_ERR_INVALID_ARG,
        _ => false,
    }
}

/// The event reports the `index`-th descriptor, and that descriptor is bad.
pub open spec fn bad_descriptor(event: DownloadEvent, index: nat) -> bool {
    match event {
        DownloadEvent::FileRead { hash, dest_path, .. } => file_problem(
            index,
            opt_vec(hash),
            opt_vec(dest_path),
        ) is Some,
        _ => false,
    }
}

fn fail(f: Failure) -> (a: DownloadAction)
    ensures
        fails_with(a, f.code, f.message@),
{
    DownloadAction::Complete(Outcome { code: f.code, error: Some(f.message), final_progress: None })
}

fn as_bytes_opt(p: &Option<Vec<u8>>) -> (r: Option<&[u8]>)
    ensures
        opt_bytes(r) == opt_vec(*p),
{
    match p {
        Some(v) => Some(v.as_slice()),
        None => None,
    }
}

impl DownloadDriver {
    /// The driver's fields agree with its phase.
    pub open spec fn wf(&self) -> bool {
        match self.phase {
            Phase::ReadingFiles => self.files@.len() < self.file_count && self.queued == 0,
            Phase::CreatingGroup => self.files@.len() == self.file_count && self.file_count > 0
                && self.queued == 0,
            Phase::BuildingGroup => self.files@.len() == self.file_count && self.file_count > 0
                && self.queued == 0,
            Phase::Enqueuing => self.files@.len() == self.file_count && self.queued
                < self.file_count,
            Phase::Awaiting => self.files@.len() == self.file_count && self.queued
                == self.file_count && self.file_count > 0,
            Phase::Done => true,
        }
    }

    /// `event` answers the action the driver last asked for.
    pub open spec fn accepts(&self, event: DownloadEvent) -> bool {
        match event {
            DownloadEvent::FileRead { .. } => self.phase is ReadingFiles,
            DownloadEvent::GroupCreated(_) => self.phase is CreatingGroup,
            DownloadEvent::GroupBuilt(_) => self.phase is BuildingGroup,
            DownloadEvent::Enqueued(_) => self.phase is Enqueuing,
            DownloadEvent::Finished(_) => self.phase is Awaiting,
        }
    }

    fn finished(config: GroupConfig, file_count: usize) -> (d: DownloadDriver)
        ensures
            d.phase is Done,
            d.file_count == file_count,
    {
        DownloadDriver { phase: Phase::Done, file_count, config, files: Vec::new(), queued: 0 }
    }

    /// Begins a batch download of `file_count` files for `session` (`None`
    /// for a NULL handle); `files_present` says whether the descriptor array
    /// pointer is non-NULL. The thread's last-error slot is cleared first, so
    /// no stale message outlives the call. A NULL session, or a NULL array with files to
    /// fetch, is an invalid argument; an empty batch succeeds at once without
    /// touching the session.
    pub fn start(
        slot: &mut LastError,
        session: Option<&LlamaXetSession>,
        files_present: bool,
        file_count: usize,
    ) -> (r: (DownloadDriver, DownloadAction))
        ensures
            final(slot).message() == Seq::<u8>::empty(),
            r.0.wf(),
            r.0.file_count == file_count,
            settled_outcome(r.1),
            ends_invalid(r.1) <==> (session is None || (!files_present && file_count > 0)),
            session is None ==> r.0.phase is Done && fails_with(
                r.1,
                LXET_ERR_INVALID_ARG,
                "session is NULL"@,
            ),
            session is Some && !files_present && file_count > 0 ==> r.0.phase is Done
                && fails_with(r.1, LXET_ERR_INVALID_ARG, "files is NULL but file_count > 0"@),
            session is Some && file_count == 0 ==> r.0.phase is Done && succeeds_with(r.1, None),
            session is Some && files_present && file_count > 0 ==> r.0.phase is ReadingFiles
                && r.0.files@.len() == 0 && r.1 == DownloadAction::ReadFile(0) && r.0.config.conforms(
                opt_view(session.unwrap().endpoint),
                opt_view(session.unwrap().bearer_token),
                opt_view(session.unwrap().token_refresh_url),
            ),
    {
        proof {
            lemma_failure_texts_nonempty();
        }
        clear(slot);
        let idle = GroupConfig { endpoint: None, auth: GroupAuth::Anonymous };
        match session {
            None => {
                let f = Failure { code: LXET_ERR_INVALID_ARG, message: "session is NULL".to_owned() };
                (Self::finished(idle, file_count), fail(f))
            },
            Some(s) => {
                if !files_present && file_count > 0 {
                    let f = Failure {
                        code: LXET_ERR_INVALID_ARG,
                        message: "files is NULL but file_count > 0".to_owned(),
                    };
                    (Self::finished(idle, file_count), fail(f))
                } else if file_count == 0 {
                    let done = Outcome { code: LXET_OK, error: None, final_progress: None };
                    (Self::finished(idle, file_count), DownloadAction::Complete(done))
                } else {
                    let driver = DownloadDriver {
                        phase: Phase::ReadingFiles,
                        file_count,
                        config: group_config(s),
                        files: Vec::new(),
                        queued: 0,
                    };
                    (driver, DownloadAction::ReadFile(0))
                }
            },
        }
    }

    /// Takes the caller's report of the last action and decides the next one.
    /// Descriptors are marshalled in order; once all are read the group is
    /// created, configured and built; then every file is queued in order,
    /// and only after the last one does the driver wait for completion. The
    /// first failure ends the call: descriptor problems as invalid
    /// arguments, everything else as a classified stage failure. Success
    /// reports the group's total byte count once more.
    pub fn step(&mut self, event: DownloadEvent) -> (action: DownloadAction)
        requires
            old(self).wf(),
            old(self).accepts(event),
        ensures
            final(self).wf(),
            final(self).file_count == old(self).file_count,
            final(self).config == old(self).config,
            settled_outcome(action),
            ends_invalid(action) <==> bad_descriptor(event, old(self).files@.len()),
            match event {
                DownloadEvent::FileRead { hash, file_size, dest_path } => {
                    let i = old(self).files@.len();
                    match file_problem(i, opt_vec(hash), opt_vec(dest_path)) {
                        Some(m) => final(self).phase is Done && fails_with(
                            action,
                            LXET_ERR_INVALID_ARG,
                            m,
                        ),
                        None => {
                            &&& final(self).files@.len() == i + 1
                            &&& final(self).files@.take(i as int) == old(self).files@
                            &&& final(self).files@[i as int].describes(
                                hash.unwrap()@,
                                file_size,
                                dest_path.unwrap()@,
                            )
                            &&& if i + 1 == old(self).file_count {
                                final(self).phase is CreatingGroup && action is CreateGroup
                            } else {
                                final(self).phase is ReadingFiles && action
                                    == DownloadAction::ReadFile((i + 1) as usize)
                            }
                        },
                    }
                },
                DownloadEvent::GroupCreated(r) => match r {
                    Ok(_) => final(self).phase is BuildingGroup && final(self).files
                        == old(self).files && builds(action, old(self).config),
                    Err(detail) => final(self).phase is Done && stage_failed(
                        action,
                        Stage::NewGroup,
                        detail@,
                    ),
                },
                DownloadEvent::GroupBuilt(r) => match r {
                    Ok(_) => final(self).phase is Enqueuing && final(self).files == old(self).files
                        && final(self).queued == 0 && enqueues(action, old(self).files@[0]),
                    Err(detail) => final(self).phase is Done && stage_failed(
                        action,
                        Stage::Build,
                        detail@,
                    ),
                },
                DownloadEvent::Enqueued(r) => match r {
                    Ok(_) => {
                        &&& final(self).files == old(self).files
                        &&& final(self).queued == old(self).queued + 1
                        &&& if final(self).queued == old(self).file_count {
                            final(self).phase is Awaiting && action is AwaitCompletion
                        } else {
                            final(self).phase is Enqueuing && enqueues(
                                action,
                                old(self).files@[final(self).queued as int],
                            )
                        }
                    },
                    Err(detail) => final(self).phase is Done && stage_failed(
                        action,
                        Stage::Enqueue,
                        detail@,
                    ),
                },
                DownloadEvent::Finished(r) => match r {
                    Ok(total) => final(self).phase is Done && succeeds_with(action, Some(total)),
                    Err(detail) => final(self).phase is Done && stage_failed(
                        action,
                        Stage::Finish,
                        detail@,
                    ),
                },
            },
    {
        proof {
            lemma_failure_texts_nonempty();
        }
        match event {
            DownloadEvent::FileRead { hash, file_size, dest_path } => {
                let i = self.files.len();
                let h = as_bytes_opt(&hash);
                let d = as_bytes_opt(&dest_path);
                match marshal_file(i, h, file_size, d) {
                    Err(f) => {
                        self.phase = Phase::Done;
                        fail(f)
                    },
                    Ok(q) => {
                        let ghost before = self.files@;
                        self.files.push(q);
                        assert(self.files@.take(i as int) =~= before);
                        if self.files.len() == self.file_count {
                            self.phase = Phase::CreatingGroup;
                            DownloadAction::CreateGroup
                        } else {
                            DownloadAction::ReadFile(self.files.len())
                        }
                    },
                }
            },
            DownloadEvent::GroupCreated(r) => match r {
                Ok(()) => {
                    self.phase = Phase::BuildingGroup;
                    DownloadAction::BuildGroup(self.config.duplicate())
                },
                Err(detail) => {
                    self.phase = Phase::Done;
                    proof {
                        lemma_stage_failure_code(Stage::NewGroup, detail@);
                    }
                    fail(stage_failure(Stage::NewGroup, detail.as_str()))
                },
            },
            DownloadEvent::GroupBuilt(r) => match r {
                Ok(()) => {
                    self.phase = Phase::Enqueuing;
                    DownloadAction::Enqueue(self.files[0].duplicate())
                },
                Err(detail) => {
                    self.phase = Phase::Done;
                    proof {
                        lemma_stage_failure_code(Stage::Build, detail@);
                    }
                    fail(stage_failure(Stage::Build, detail.as_str()))
                },
            },
            DownloadEvent::Enqueued(r) => match r {
                Ok(()) => {
                    self.queued = self.queued + 1;
                    if self.queued == self.file_count {
                        self.phase = Phase::Awaiting;
                        DownloadAction::AwaitCompletion
                    } else {
                        DownloadAction::Enqueue(self.files[self.queued].duplicate())
                    }
                },
                Err(detail) => {
                    self.phase = Phase::Done;
                    proof {
                        lemma_stage_failure_code(Stage::Enqueue, detail@);
                    }
                    fail(stage_failure(Stage::Enqueue, detail.as_str()))
                },
            },
            DownloadEvent::Finished(r) => match r {
                Ok(total) => {
                    self.phase = Phase::Done;
                    DownloadAction::Complete(
                        Outcome { code: LXET_OK, error: None, final_progress: Some(total) },
                    )
                },
                Err(detail) => {
                    self.phase = Phase::Done;
                    proof {
                        lemma_stage_failure_code(Stage::Finish, detail@);
                    }
                    fail(stage_failure(Stage::Finish, detail.as_str()))
                },
            },
        }
    }
}

} // verus!

verus! {

/// A stage failure is always reported with one of the five failure codes:
/// never as success and never as an invalid argument, whatever the error
/// text.
pub proof fn lemma_stage_failure_code(stage: Stage, detail: Seq<char>)
    ensures
        error_class(stage_message(stage, detail)) != LXET_OK,
        error_class(stage_message(stage, detail)) != LXET_ERR_INVALID_ARG,
        error_class(stage_message(stage, detail)) == crate::status::LXET_ERR_CANCELLED
            || error_class(stage_message(stage, detail)) == crate::status::LXET_ERR_AUTH
            || error_class(stage_message(stage, detail)) == crate::status::LXET_ERR_INTEGRITY
            || error_class(stage_message(stage, detail)) == crate::status::LXET_ERR_NETWORK
            || error_class(stage_message(stage, detail)) == crate::status::LXET_ERR_OTHER,
{
    crate::classify::lemma_classification_is_failure(
        crate::classify::lowercase_of(stage_message(stage, detail)),
    );
}

/// Every failure the driver reports for a descriptor is an invalid argument
/// that names the descriptor's index and field; a descriptor with a NULL
/// hash is reported for its hash even when its destination is bad too.
pub proof fn lemma_file_problem_names_field(index: nat, hash: Option<Seq<u8>>, dest_path: Option<
    Seq<u8>,
>)
    ensures
        hash is None ==> file_problem(index, hash, dest_path) == Some(
            null_pointer_message(hash_field(index)),
        ),
        (hash matches Some(h) && valid_utf8(h)) ==> file_problem(index, hash, dest_path)
            == text_problem(dest_path, dest_field(index)),
{
}

/// Ends a batch download with `outcome`: a failure leaves its message in the
/// slot, success leaves the slot as it was, which `start` cleared and no
/// step touches: a successful call ends with an empty slot, a failed one
/// with a non-empty message.
/// Returns the code to hand back and the byte count to report once more to
/// the progress callback, if any.
pub fn conclude(slot: &mut LastError, outcome: Outcome) -> (r: (i32, Option<u64>))
    ensures
        r.0 == outcome.code,
        r.1 == outcome.final_progress,
        match outcome.error {
            Some(m) => final(slot).message() == stored_message(m@) && (m@.len() > 0
                ==> final(slot).message().len() > 0),
            None => final(slot).message() == old(slot).message(),
        },
{
    if let Some(m) = &outcome.error {
        proof {
            if m@.len() > 0 {
                lemma_stored_message_nonempty(m@);
            }
        }
        crate::last_error::set(slot, m.as_str());
    }
    (outcome.code, outcome.final_progress)
}

/// A batch download ends with an empty last-error slot exactly when it
/// succeeds: the slot is empty after `start`, the steps leave it alone, and
/// `conclude` keeps it on success and records the failure's non-empty
/// message otherwise. Stated for a slot as `start` leaves it and an
/// outcome as `start` or `step` hands it out.
pub proof fn lemma_slot_empty_iff_success(before: Seq<u8>, o: Outcome, after: Seq<u8>)
    requires
        before == Seq::<u8>::empty(),
        settled_outcome(DownloadAction::Complete(o)),
        match o.error {
            Some(m) => after == stored_message(m@),
            None => after == before,
        },
    ensures
        o.code == LXET_OK <==> after == Seq::<u8>::empty(),
{
    if let Some(m) = o.error {
        lemma_stored_message_nonempty(m@);
    }
}

/// A descriptor's size is passed on unchanged: 0 stands for "unknown",
/// and any other value is the size itself.
pub proof fn lemma_size_passed_through(file_size: u64)
    ensures
        file_size == 0 ==> known_size(file_size) is None,
        file_size != 0 ==> known_size(file_size) == Some(file_size),
{
}

/// A configuration that conforms to a session keeps the session's endpoint
/// whatever credentials it holds; a refresh URL is used when there is one,
/// otherwise a bearer token as a static token that never expires, otherwise
/// no credentials.
pub proof fn lemma_conforming_config(
    c: GroupConfig,
    endpoint: Option<Seq<char>>,
    bearer_token: Option<Seq<char>>,
    token_refresh_url: Option<Seq<char>>,
)
    requires
        c.conforms(endpoint, bearer_token, token_refresh_url),
    ensures
        opt_view(c.endpoint) == endpoint,
        token_refresh_url is Some ==> c.auth is RefreshUrl,
        token_refresh_url is Some ==> c.auth->RefreshUrl_0@ == token_refresh_url.unwrap(),
        token_refresh_url is None && bearer_token is Some ==> c.auth is StaticToken,
        token_refresh_url is None && bearer_token is Some ==> c.auth->StaticToken_0@
            == bearer_token.unwrap(),
        token_refresh_url is None && bearer_token is Some ==> c.auth->StaticToken_1 == u64::MAX,
        token_refresh_url is None && bearer_token is None ==> c.auth is Anonymous,
{
}

} // verus!
