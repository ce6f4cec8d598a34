//! The values that one authentication attempt is made of.

use vstd::prelude::*;

verus! {

/// The key identifier given to an identity whose verdict carried none.
pub const MISSING_KEY_ID: &'static str = "No key in Unkey response";

/// The view of a text that may be absent.
pub open spec fn text_view(text: Option<String>) -> Option<Seq<char>> {
    match text {
        Some(text) => Some(text@),
        None => None,
    }
}

/// Identifies the key namespace that credentials are verified against.
/// It is set once when the process starts and never changes afterwards.
#[derive(Clone, Debug)]
pub struct UnkeyApiId(pub String);

impl View for UnkeyApiId {
    type V = Seq<char>;

    open spec fn view(&self) -> Seq<char> {
        self.0@
    }
}

impl UnkeyApiId {
    /// The identifier as text.
    pub fn as_str(&self) -> (text: &str)
        ensures
            text@ == self@,
    {
        self.0.as_str()
    }
}

impl From<UnkeyApiId> for String {
    /// Gives up the identifier's text.
    fn from(api_id: UnkeyApiId) -> (text: String) {
        api_id.0
    }
}

impl vstd::std_specs::convert::FromSpecImpl<UnkeyApiId> for String {
    open spec fn obeys_from_spec() -> bool {
        true
    }

    open spec fn from_spec(api_id: UnkeyApiId) -> String {
        api_id.0
    }
}

/// What is sent to the verification service: the credential exactly as the
/// client presented it, and the namespace to verify it against.
#[derive(Debug)]
pub struct VerificationRequest {
    pub credential: String,
    pub tenant_id: String,
}

/// The mathematical value of a [`VerificationRequest`].
pub struct RequestView {
    pub credential: Seq<char>,
    pub tenant_id: Seq<char>,
}

impl View for VerificationRequest {
    type V = RequestView;

    open spec fn view(&self) -> RequestView {
        RequestView { credential: self.credential@, tenant_id: self.tenant_id@ }
    }
}

/// The verification service's answer. `key_id` means something only when
/// `valid` is set.
#[derive(Debug)]
pub struct VerificationVerdict {
    pub valid: bool,
    pub key_id: Option<String>,
}

/// The mathematical value of a [`VerificationVerdict`].
pub struct VerdictView {
    pub valid: bool,
    pub key_id: Option<Seq<char>>,
}

impl View for VerificationVerdict {
    type V = VerdictView;

    open spec fn view(&self) -> VerdictView {
        VerdictView { valid: self.valid, key_id: text_view(self.key_id) }
    }
}

/// What the local user store knows of an account. The verdict does not
/// provide it: whoever sets up the extractor supplies it.
#[derive(Clone, Debug)]
pub struct LocalUserRecord {
    pub id: String,
    pub username: String,
}

/// The mathematical value of a [`LocalUserRecord`].
pub struct RecordView {
    pub id: Seq<char>,
    pub username: Seq<char>,
}

impl View for LocalUserRecord {
    type V = RecordView;

    open spec fn view(&self) -> RecordView {
        RecordView { id: self.id@, username: self.username@ }
    }
}

impl LocalUserRecord {
    /// The record of the stand-in account, for a service that has no user
    /// store yet.
    pub fn placeholder() -> (record: LocalUserRecord)
        ensures
            record@ == placeholder_record(),
    {
        LocalUserRecord {
            id: String::from_str("yAXutuxsKe"),
            username: String::from_str("robinsonkayla"),
        }
    }
}

/// The record that [`LocalUserRecord::placeholder`] returns.
pub open spec fn placeholder_record() -> RecordView {
    RecordView { id: "yAXutuxsKe"@, username: "robinsonkayla"@ }
}

/// Why a request was not authenticated.
#[derive(Clone, Copy, Debug, PartialEq, Eq, Structural)]
pub enum Rejection {
    /// The request had no `Authorization` header, or one that is not of the
    /// bearer scheme.
    MissingCredential,
    /// The verification service answered, and said that the credential is
    /// not valid.
    InvalidCredential,
    /// The verification service could not be reached.
    VerificationUnreachable,
}

/// How loudly a rejection is to be logged.
#[derive(Clone, Copy, Debug, PartialEq, Eq, Structural)]
pub enum Severity {
    /// The client did something wrong.
    Warning,
    /// The service's own surroundings are in trouble.
    Error,
}

impl Severity {
    /// The position of a severity in the order from quiet to loud.
    pub open spec fn rank(self) -> nat {
        match self {
            Severity::Warning => 1,
            Severity::Error => 2,
        }
    }
}

/// The HTTP status of a response that carries a route's answer.
pub const STATUS_OK: u16 = 200;

/// The HTTP status of every rejection.
pub const STATUS_UNAUTHORIZED: u16 = 401;

impl Rejection {
    /// The severity that a rejection is logged at.
    pub open spec fn spec_severity(self) -> Severity {
        match self {
            Rejection::VerificationUnreachable => Severity::Error,
            _ => Severity::Warning,
        }
    }

    /// The severity to log this rejection at. A service that cannot be
    /// reached is logged louder than a credential that was turned down.
    pub fn severity(&self) -> (level: Severity)
        ensures
            level == self.spec_severity(),
    {
        match self {
            Rejection::VerificationUnreachable => Severity::Error,
            _ => Severity::Warning,
        }
    }

    /// The status that the client sees. It is the same for every reason, so
    /// that a response does not tell why the request was refused.
    pub fn status(&self) -> (code: u16)
        ensures
            code == STATUS_UNAUTHORIZED,
    {
        STATUS_UNAUTHORIZED
    }
}

/// The key identifier that an identity takes from a verdict.
pub open spec fn key_identifier(verdict: VerdictView) -> Seq<char> {
    match verdict.key_id {
        Some(key) => key,
        None => MISSING_KEY_ID@,
    }
}

/// The identity that a valid verdict gives to the account `record`.
pub open spec fn identity_of(record: RecordView, verdict: VerdictView) -> UserView {
    UserView { id: record.id, username: record.username, key_id: key_identifier(verdict) }
}

/// An authenticated user. The fields are private and the only constructor
/// takes a verdict, so an identity exists only for a credential that the
/// verification service accepted.
#[derive(Debug)]
pub struct User {
    id: String,
    username: String,
    key_id: String,
}

/// The mathematical value of a [`User`].
pub struct UserView {
    pub id: Seq<char>,
    pub username: Seq<char>,
    pub key_id: Seq<char>,
}

impl View for User {
    type V = UserView;

    closed spec fn view(&self) -> UserView {
        UserView { id: self.id@, username: self.username@, key_id: self.key_id@ }
    }
}

impl User {
    /// Builds the identity of the account `record` from the verdict on its
    /// credential, or says that the credential was turned down.
    pub fn from_verdict(verdict: VerificationVerdict, record: &LocalUserRecord) -> (outcome: Result<
        User,
        Rejection,
    >)
        ensures
            verdict.valid ==> outcome is Ok && outcome->Ok_0@ == identity_of(record@, verdict@),
            !verdict.valid ==> outcome == Err::<User, Rejection>(Rejection::InvalidCredential),
    {
        if !verdict.valid {
            return Err(Rejection::InvalidCredential);
        }
        let key_id = match verdict.key_id {
            Some(key) => key,
            None => String::from_str(MISSING_KEY_ID),
        };
        Ok(User { id: record.id.clone(), username: record.username.clone(), key_id })
    }

    /// The account's identifier in the local user store.
    pub fn id(&self) -> (text: &str)
        ensures
            text@ == self@.id,
    {
        self.id.as_str()
    }

    /// The name to greet the user by.
    pub fn username(&self) -> (text: &str)
        ensures
            text@ == self@.username,
    {
        self.username.as_str()
    }

    /// The identifier under which the verification service knows the key.
    pub fn key_id(&self) -> (text: &str)
        ensures
            text@ == self@.key_id,
    {
        self.key_id.as_str()
    }
}

} // verus!
