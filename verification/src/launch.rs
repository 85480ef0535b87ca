//! Launching the enclave: the decisions between the host's outside steps
//! (finding the home directory, reading and saving the launch token,
//! creating the enclave), as a state machine. The host performs each action
//! and hands back what came of it.
use vstd::prelude::*;
use crate::buffer::{copy_into, overwrite_prefix, zero_padded, zeroed};
use crate::status::SgxStatus;

verus! {

/// The size of a launch token (`sgx_launch_token_t`).
pub const TOKEN_LEN: usize = 1024;

/// The debug flag that the enclave is created with.
pub const DEBUG_FLAG: i32 = 1;

/// The file the enclave is loaded from.
pub const ENCLAVE_FILE: &'static str = "enclave.signed.so";

/// A launch token of zeros.
pub open spec fn blank_token() -> Seq<u8> {
    Seq::new(TOKEN_LEN as nat, |i: int| 0u8)
}

/// Where a launch stands.
#[derive(Clone, Copy, Debug, PartialEq, Eq, Structural)]
pub enum LaunchStage {
    FindHome,
    OpenToken,
    ReadToken,
    Create,
    CreateTokenFile,
    WriteToken,
    Finished,
}

/// What came of the last action.
pub enum LaunchEvent {
    /// Whether a home directory was found.
    HomeDir { found: bool },
    /// Whether the token file could be opened.
    TokenFileOpened { ok: bool },
    /// The bytes that a read of the token file into a token-sized buffer
    /// gave, or `None` where the read failed.
    TokenFileRead { read: Option<Vec<u8>> },
    /// The result of creating the enclave: on success the "token updated"
    /// flag and the token buffer as the creation left it, or else the
    /// failure status.
    EnclaveCreated { result: Result<(i32, Vec<u8>), SgxStatus> },
    /// Whether the token file could be created for writing.
    TokenFileCreated { ok: bool },
    /// Whether the whole token could be written.
    TokenFileWritten { ok: bool },
}

/// What the host is to do next.
pub enum LaunchAction {
    /// Open the token file in the home directory.
    OpenTokenFile,
    /// Read the token file into a buffer of `TOKEN_LEN` bytes.
    ReadTokenFile,
    /// Create the enclave from `file` with this launch token and debug flag;
    /// the "token updated" flag that the creation fills in starts as
    /// `token_updated`, and the misc attributes as `attr_flags`,
    /// `attr_xfrm` and `misc_select`.
    CreateEnclave {
        file: &'static str,
        token: Vec<u8>,
        debug: i32,
        token_updated: i32,
        attr_flags: u64,
        attr_xfrm: u64,
        misc_select: u32,
    },
    /// Create the token file for writing.
    CreateTokenFile,
    /// Write this token to the token file.
    WriteTokenFile { token: Vec<u8> },
    /// The launch is over: with the enclave, or with the creation's failure.
    Finish { result: Result<(), SgxStatus> },
}

/// What the host reports along the way.
#[derive(Clone, Copy, Debug, PartialEq, Eq, Structural)]
pub enum LaunchNote {
    HomeDirFound,
    HomeDirMissing,
    TokenFileOpenFailed,
    TokenFileOpened,
    TokenValid,
    TokenInvalid,
    TokenSaved,
    TokenSaveFailed,
    TokenFileCreateFailed,
}

/// The state of a launch, as a mathematical value.
pub struct LaunchState {
    pub stage: LaunchStage,
    pub use_token: bool,
    pub token: Seq<u8>,
    pub token_updated: i32,
}

/// A launch in progress.
pub struct Launcher {
    stage: LaunchStage,
    use_token: bool,
    token: Vec<u8>,
    token_updated: i32,
}

impl View for Launcher {
    type V = LaunchState;

    closed spec fn view(&self) -> LaunchState {
        LaunchState {
            stage: self.stage,
            use_token: self.use_token,
            token: self.token@,
            token_updated: self.token_updated,
        }
    }
}

/// Whether `event` answers the action that a launch at `stage` asked for.
pub open spec fn event_fits(stage: LaunchStage, event: LaunchEvent) -> bool {
    match event {
        LaunchEvent::HomeDir { .. } => stage == LaunchStage::FindHome,
        LaunchEvent::TokenFileOpened { .. } => stage == LaunchStage::OpenToken,
        LaunchEvent::TokenFileRead { read } => stage == LaunchStage::ReadToken && match read {
            Some(bytes) => bytes@.len() <= TOKEN_LEN,
            None => true,
        },
        LaunchEvent::EnclaveCreated { result } => stage == LaunchStage::Create && match result {
            Ok((_, token)) => token@.len() == TOKEN_LEN,
            Err(_) => true,
        },
        LaunchEvent::TokenFileCreated { .. } => stage == LaunchStage::CreateTokenFile,
        LaunchEvent::TokenFileWritten { .. } => stage == LaunchStage::WriteToken,
    }
}

/// The state a launch is in before it starts.
pub open spec fn initial_state() -> LaunchState {
    LaunchState {
        stage: LaunchStage::FindHome,
        use_token: false,
        token: blank_token(),
        token_updated: 0,
    }
}

/// Whether `action` asks to create the enclave from `ENCLAVE_FILE` with
/// `token`, the debug flag, the "updated" flag at 0 and all misc attributes
/// at 0.
pub open spec fn creates_with(action: LaunchAction, token: Seq<u8>) -> bool {
    &&& action matches LaunchAction::CreateEnclave {
        file,
        token: t,
        debug,
        token_updated,
        attr_flags,
        attr_xfrm,
        misc_select,
    }
    &&& file@ == ENCLAVE_FILE@
    &&& t@ == token
    &&& debug == DEBUG_FLAG
    &&& token_updated == 0
    &&& attr_flags == 0
    &&& attr_xfrm == 0
    &&& misc_select == 0
}

/// Whether `action` ends the launch with `result`.
pub open spec fn finishes_with(action: LaunchAction, result: Result<(), SgxStatus>) -> bool {
    action matches LaunchAction::Finish { result: r } && r == result
}

/// One step of a launch: from `pre`, on `event`, the launch moves to `post`,
/// asks for `action` and reports `note`.
pub open spec fn launch_step(
    pre: LaunchState,
    event: LaunchEvent,
    post: LaunchState,
    action: LaunchAction,
    note: Option<LaunchNote>,
) -> bool {
    match event {
        LaunchEvent::HomeDir { found } => {
            &&& post.use_token == found
            &&& post.token == pre.token
            &&& post.token_updated == pre.token_updated
            &&& if found {
                &&& post.stage == LaunchStage::OpenToken
                &&& action is OpenTokenFile
                &&& note == Some(LaunchNote::HomeDirFound)
            } else {
                &&& post.stage == LaunchStage::Create
                &&& creates_with(action, pre.token)
                &&& note == Some(LaunchNote::HomeDirMissing)
            }
        },
        LaunchEvent::TokenFileOpened { ok } => {
            &&& post.use_token == pre.use_token
            &&& post.token == pre.token
            &&& post.token_updated == pre.token_updated
            &&& if ok {
                &&& post.stage == LaunchStage::ReadToken
                &&& action is ReadTokenFile
                &&& note == Some(LaunchNote::TokenFileOpened)
            } else {
                &&& post.stage == LaunchStage::Create
                &&& creates_with(action, pre.token)
                &&& note == Some(LaunchNote::TokenFileOpenFailed)
            }
        },
        LaunchEvent::TokenFileRead { read } => {
            &&& post.stage == LaunchStage::Create
            &&& post.use_token == pre.use_token
            &&& post.token_updated == pre.token_updated
            &&& post.token == match read {
                Some(bytes) => overwrite_prefix(pre.token, bytes@),
                None => pre.token,
            }
            &&& creates_with(action, post.token)
            &&& note == if read matches Some(bytes) && bytes@.len() == TOKEN_LEN {
                Some(LaunchNote::TokenValid)
            } else {
                Some(LaunchNote::TokenInvalid)
            }
        },
        LaunchEvent::EnclaveCreated { result } => {
            &&& post.use_token == pre.use_token
            &&& note is None
            &&& match result {
                Ok((updated, token)) => {
                    &&& post.token == token@
                    &&& post.token_updated == updated
                    &&& if pre.use_token && updated != 0 {
                        &&& post.stage == LaunchStage::CreateTokenFile
                        &&& action is CreateTokenFile
                    } else {
                        &&& post.stage == LaunchStage::Finished
                        &&& finishes_with(action, Ok(()))
                    }
                },
                Err(status) => {
                    &&& post.token == pre.token
                    &&& post.token_updated == pre.token_updated
                    &&& post.stage == LaunchStage::Finished
                    &&& finishes_with(action, Err(status))
                },
            }
        },
        LaunchEvent::TokenFileCreated { ok } => {
            &&& post.use_token == pre.use_token
            &&& post.token == pre.token
            &&& post.token_updated == pre.token_updated
            &&& if ok {
                &&& post.stage == LaunchStage::WriteToken
                &&& action matches LaunchAction::WriteTokenFile { token } && token@ == pre.token
                &&& note is None
            } else {
                &&& post.stage == LaunchStage::Finished
                &&& finishes_with(action, Ok(()))
                &&& note == Some(LaunchNote::TokenFileCreateFailed)
            }
        },
        LaunchEvent::TokenFileWritten { ok } => {
            &&& post.use_token == pre.use_token
            &&& post.token == pre.token
            &&& post.token_updated == pre.token_updated
            &&& post.stage == LaunchStage::Finished
            &&& finishes_with(action, Ok(()))
            &&& note == if ok {
                Some(LaunchNote::TokenSaved)
            } else {
                Some(LaunchNote::TokenSaveFailed)
            }
        },
    }
}

/// The order of the stages; every step moves to a later one.
pub open spec fn stage_rank(stage: LaunchStage) -> nat {
    match stage {
        LaunchStage::FindHome => 0,
        LaunchStage::OpenToken => 1,
        LaunchStage::ReadToken => 2,
        LaunchStage::Create => 3,
        LaunchStage::CreateTokenFile => 4,
        LaunchStage::WriteToken => 5,
        LaunchStage::Finished => 6,
    }
}

/// What holds of every state that a launch reaches: the token has the size
/// of a launch token and is blank until it is read; the token file is
/// touched only where a home directory was found; it is written only where
/// the creation also reported the token updated.
pub open spec fn reachable_shape(s: LaunchState) -> bool {
    &&& s.token.len() == TOKEN_LEN
    &&& (s.stage == LaunchStage::FindHome || s.stage == LaunchStage::OpenToken
        || s.stage == LaunchStage::ReadToken) ==> s.token == blank_token()
    &&& (s.stage == LaunchStage::OpenToken || s.stage == LaunchStage::ReadToken) ==> s.use_token
    &&& (s.stage == LaunchStage::CreateTokenFile || s.stage == LaunchStage::WriteToken) ==> (
        s.use_token && s.token_updated != 0)
}

/// A launch starts in that shape.
pub proof fn lemma_initial_shape()
    ensures
        reachable_shape(initial_state()),
{
}

/// Every step keeps that shape, and moves the launch to a later stage; so
/// a launch ends after at most six steps, and once it has ended no event
/// fits it any more.
pub proof fn lemma_step_keeps_shape(
    pre: LaunchState,
    event: LaunchEvent,
    post: LaunchState,
    action: LaunchAction,
    note: Option<LaunchNote>,
)
    requires
        reachable_shape(pre),
        event_fits(pre.stage, event),
        launch_step(pre, event, post, action, note),
    ensures
        reachable_shape(post),
        stage_rank(pre.stage) < stage_rank(post.stage),
        !event_fits(LaunchStage::Finished, event),
{
}

/// The token file is created and written only where a home directory was
/// found and the enclave's creation reported the token updated.
pub proof fn lemma_token_saved_only_when_updated(
    pre: LaunchState,
    event: LaunchEvent,
    post: LaunchState,
    action: LaunchAction,
    note: Option<LaunchNote>,
)
    requires
        reachable_shape(pre),
        event_fits(pre.stage, event),
        launch_step(pre, event, post, action, note),
        action is CreateTokenFile || action is WriteTokenFile,
    ensures
        post.use_token,
        post.token_updated != 0,
{
}

/// A launch fails exactly where the enclave's creation fails, and with its
/// status: failures to read or save the token do not fail it.
pub proof fn lemma_fails_only_on_create(
    pre: LaunchState,
    event: LaunchEvent,
    post: LaunchState,
    action: LaunchAction,
    note: Option<LaunchNote>,
    status: SgxStatus,
)
    requires
        event_fits(pre.stage, event),
        launch_step(pre, event, post, action, note),
    ensures
        finishes_with(action, Err(status)) <==> event == (LaunchEvent::EnclaveCreated {
            result: Err(status),
        }),
{
}

/// After a read of the token file the enclave is created with the bytes
/// read followed by zeros; the token counts as valid exactly where the read
/// filled the whole token.
pub proof fn lemma_token_from_file(
    pre: LaunchState,
    bytes: Vec<u8>,
    post: LaunchState,
    action: LaunchAction,
    note: Option<LaunchNote>,
)
    requires
        reachable_shape(pre),
        pre.stage == LaunchStage::ReadToken,
        bytes@.len() <= TOKEN_LEN,
        launch_step(pre, LaunchEvent::TokenFileRead { read: Some(bytes) }, post, action, note),
    ensures
        creates_with(action, zero_padded(bytes@, TOKEN_LEN as nat)),
        note == Some(LaunchNote::TokenValid) <==> bytes@.len() == TOKEN_LEN,
{
    assert(overwrite_prefix(blank_token(), bytes@) =~= zero_padded(bytes@, TOKEN_LEN as nat));
}

/// A successful creation hands its token on: the launch keeps exactly the
/// token the creation left in the buffer, whatever was there before.
pub proof fn lemma_created_token_is_kept(
    pre: LaunchState,
    updated: i32,
    token: Vec<u8>,
    post: LaunchState,
    action: LaunchAction,
    note: Option<LaunchNote>,
)
    requires
        launch_step(pre, LaunchEvent::EnclaveCreated { result: Ok((updated, token)) }, post, action, note),
    ensures
        post.token == token@,
        post.token_updated == updated,
{
}

/// Once a home directory was found, a creation that reports the token
/// updated always leads to creating the token file, whatever the token
/// holds; one that reports it unchanged ends the launch successfully.
pub proof fn lemma_updated_token_is_saved(
    pre: LaunchState,
    updated: i32,
    token: Vec<u8>,
    post: LaunchState,
    action: LaunchAction,
    note: Option<LaunchNote>,
)
    requires
        launch_step(pre, LaunchEvent::EnclaveCreated { result: Ok((updated, token)) }, post, action, note),
    ensures
        pre.use_token && updated != 0 ==> action is CreateTokenFile,
        !(pre.use_token && updated != 0) ==> finishes_with(action, Ok(())),
{
}

/// Over two steps: after a creation that reports the token updated, with a
/// home directory found, and a successful creation of the token file, the
/// token written is the one the creation left in the buffer.
pub proof fn lemma_saved_token_is_created_token(
    pre: LaunchState,
    updated: i32,
    token: Vec<u8>,
    mid: LaunchState,
    action1: LaunchAction,
    note1: Option<LaunchNote>,
    post: LaunchState,
    action2: LaunchAction,
    note2: Option<LaunchNote>,
)
    requires
        pre.use_token,
        updated != 0,
        launch_step(pre, LaunchEvent::EnclaveCreated { result: Ok((updated, token)) }, mid, action1, note1),
        launch_step(mid, LaunchEvent::TokenFileCreated { ok: true }, post, action2, note2),
    ensures
        action1 is CreateTokenFile,
        action2 matches LaunchAction::WriteTokenFile { token: written } && written@ == token@,
{
}

/// A whole first launch without a token file: home directory found, the
/// token file missing, the creation reporting the token updated, the token
/// file created; the token written is the one the creation returned.
pub proof fn lemma_first_launch_saves_token(
    updated: i32,
    token: Vec<u8>,
    s1: LaunchState,
    a1: LaunchAction,
    n1: Option<LaunchNote>,
    s2: LaunchState,
    a2: LaunchAction,
    n2: Option<LaunchNote>,
    s3: LaunchState,
    a3: LaunchAction,
    n3: Option<LaunchNote>,
    s4: LaunchState,
    a4: LaunchAction,
    n4: Option<LaunchNote>,
)
    requires
        updated != 0,
        launch_step(initial_state(), LaunchEvent::HomeDir { found: true }, s1, a1, n1),
        launch_step(s1, LaunchEvent::TokenFileOpened { ok: false }, s2, a2, n2),
        launch_step(s2, LaunchEvent::EnclaveCreated { result: Ok((updated, token)) }, s3, a3, n3),
        launch_step(s3, LaunchEvent::TokenFileCreated { ok: true }, s4, a4, n4),
    ensures
        creates_with(a2, blank_token()),
        a3 is CreateTokenFile,
        a4 matches LaunchAction::WriteTokenFile { token: written } && written@ == token@,
{
}

impl Launcher {
    /// Whether the token buffer has the size of a launch token.
    pub closed spec fn well_formed(&self) -> bool {
        self.token@.len() == TOKEN_LEN
    }

    /// A launch before its first step, whose first action is to look for
    /// the home directory.
    pub fn new() -> (launcher: Launcher)
        ensures
            launcher@ == initial_state(),
            launcher.well_formed(),
    {
        Launcher {
            stage: LaunchStage::FindHome,
            use_token: false,
            token: zeroed(TOKEN_LEN),
            token_updated: 0,
        }
    }

    /// Where the launch stands.
    pub fn stage(&self) -> (stage: LaunchStage)
        ensures
            stage == self@.stage,
    {
        self.stage
    }

    fn create_action(&self) -> (action: LaunchAction)
        ensures
            creates_with(action, self.token@),
    {
        LaunchAction::CreateEnclave {
            file: ENCLAVE_FILE,
            token: self.token.clone(),
            debug: DEBUG_FLAG,
            token_updated: 0,
            attr_flags: 0,
            attr_xfrm: 0,
            misc_select: 0,
        }
    }

    /// Takes what came of the last action, and says what to do next and
    /// what to report.
    pub fn step(&mut self, event: LaunchEvent) -> (out: (LaunchAction, Option<LaunchNote>))
        requires
            old(self).well_formed(),
            event_fits(old(self)@.stage, event),
        ensures
            final(self).well_formed(),
            launch_step(old(self)@, event, final(self)@, out.0, out.1),
            event matches LaunchEvent::EnclaveCreated { result: Ok((updated, token)) } ==> {
                &&& final(self)@.token == token@
                &&& (out.0 is CreateTokenFile <==> (old(self)@.use_token && updated != 0))
            },
            event matches LaunchEvent::TokenFileCreated { ok: true } ==> (out.0 matches LaunchAction::WriteTokenFile { token } && token@ == old(self)@.token),
    {
        match event {
            LaunchEvent::HomeDir { found } => {
                self.use_token = found;
                if found {
                    self.stage = LaunchStage::OpenToken;
                    (LaunchAction::OpenTokenFile, Some(LaunchNote::HomeDirFound))
                } else {
                    self.stage = LaunchStage::Create;
                    (self.create_action(), Some(LaunchNote::HomeDirMissing))
                }
            },
            LaunchEvent::TokenFileOpened { ok } => {
                if ok {
                    self.stage = LaunchStage::ReadToken;
                    (LaunchAction::ReadTokenFile, Some(LaunchNote::TokenFileOpened))
                } else {
                    self.stage = LaunchStage::Create;
                    (self.create_action(), Some(LaunchNote::TokenFileOpenFailed))
                }
            },
            LaunchEvent::TokenFileRead { read } => {
                self.stage = LaunchStage::Create;
                let note = match read {
                    Some(bytes) => {
                        copy_into(&mut self.token, bytes.as_slice());
                        if bytes.len() == TOKEN_LEN {
                            LaunchNote::TokenValid
                        } else {
                            LaunchNote::TokenInvalid
                        }
                    },
                    None => LaunchNote::TokenInvalid,
                };
                (self.create_action(), Some(note))
            },
            LaunchEvent::EnclaveCreated { result } => {
                match result {
                    Ok((updated, token)) => {
                        self.token = token;
                        self.token_updated = updated;
                        if self.use_token && updated != 0 {
                            self.stage = LaunchStage::CreateTokenFile;
                            (LaunchAction::CreateTokenFile, None)
                        } else {
                            self.stage = LaunchStage::Finished;
                            (LaunchAction::Finish { result: Ok(()) }, None)
                        }
                    },
                    Err(status) => {
                        self.stage = LaunchStage::Finished;
                        (LaunchAction::Finish { result: Err(status) }, None)
                    },
                }
            },
            LaunchEvent::TokenFileCreated { ok } => {
                if ok {
                    self.stage = LaunchStage::WriteToken;
                    (LaunchAction::WriteTokenFile { token: self.token.clone() }, None)
                } else {
                    self.stage = LaunchStage::Finished;
                    (LaunchAction::Finish { result: Ok(()) }, Some(LaunchNote::TokenFileCreateFailed))
                }
            },
            LaunchEvent::TokenFileWritten { ok } => {
                self.stage = LaunchStage::Finished;
                let note = if ok {
                    LaunchNote::TokenSaved
                } else {
                    LaunchNote::TokenSaveFailed
                };
                (LaunchAction::Finish { result: Ok(()) }, Some(note))
            },
        }
    }
}

} // verus!
