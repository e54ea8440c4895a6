//! The remote telemetry source: where a sensor is asked for, with which
//! credentials, and how its reply is read.

use crate::text::{append_chars, chars_of, slice_chars};
use vstd::prelude::*;

verus! {

/// Seconds after which a request is given up.
pub const REQUEST_TIMEOUT_SECS: u64 = 5;

/// The state of one sensor as the source reports it.
#[derive(Debug, Clone)]
pub struct EntityState {
    /// Identifier of the sensor.
    pub entity_id: String,
    /// Its state: text that may or may not be a number.
    pub state: String,
}

/// Why a sensor could not be fetched.
#[derive(Clone, Copy, Debug, PartialEq, Eq, Structural)]
pub enum FetchError {
    /// The source did not answer: no route, or no answer in time.
    Unreachable,
    /// The source refused the token.
    Unauthorized,
    /// The source answered with a failure status or with a body that is not
    /// a sensor state.
    BadResponse,
}

impl FetchError {
    /// The failure in words, for the screen.
    pub open spec fn description(self) -> Seq<char> {
        match self {
            FetchError::Unreachable => "Home Assistant could not be reached"@,
            FetchError::Unauthorized => "Home Assistant refused the access token"@,
            FetchError::BadResponse => "Home Assistant returned an unusable response"@,
        }
    }

    /// Executable form of [`FetchError::description`].
    pub fn describe(self) -> (text: String)
        ensures
            text@ == self.description(),
    {
        let words: &str = match self {
            FetchError::Unreachable => "Home Assistant could not be reached",
            FetchError::Unauthorized => "Home Assistant refused the access token",
            FetchError::BadResponse => "Home Assistant returned an unusable response",
        };
        let mut text = String::new();
        append_chars(&mut text, &chars_of(words));
        assert(text@ =~= words@);
        text
    }
}

/// What came back for one request.
#[derive(Debug)]
pub enum Reply {
    /// Nothing: the source could not be reached or did not answer in time.
    Silent,
    /// An answer with its HTTP status and, where the body was a sensor
    /// state, that state.
    Answered { status: u16, body: Option<EntityState> },
}

/// Whether an HTTP status reports success.
pub open spec fn is_success(status: u16) -> bool {
    200 <= status <= 299
}

/// What a reply means for the sensor that was asked for.
pub open spec fn reply_outcome(reply: Reply) -> Result<EntityState, FetchError> {
    match reply {
        Reply::Silent => Err(FetchError::Unreachable),
        Reply::Answered { status, body } => if status == 401 {
            Err(FetchError::Unauthorized)
        } else if !is_success(status) {
            Err(FetchError::BadResponse)
        } else {
            match body {
                Some(state) => Ok(state),
                None => Err(FetchError::BadResponse),
            }
        },
    }
}

/// Reads a reply: the sensor's state, or the reason there is none.
pub fn interpret_reply(reply: Reply) -> (r: Result<EntityState, FetchError>)
    ensures
        r == reply_outcome(reply),
{
    match reply {
        Reply::Silent => Err(FetchError::Unreachable),
        Reply::Answered { status, body } => {
            if status == 401 {
                Err(FetchError::Unauthorized)
            } else if status < 200 || status > 299 {
                Err(FetchError::BadResponse)
            } else {
                match body {
                    Some(state) => Ok(state),
                    None => Err(FetchError::BadResponse),
                }
            }
        },
    }
}

/// `s` without the slashes at its end.
pub open spec fn without_trailing_slashes(s: Seq<char>) -> Seq<char>
    decreases s.len(),
{
    if s.len() > 0 && s.last() == '/' {
        without_trailing_slashes(s.drop_last())
    } else {
        s
    }
}

/// The address at which the source at `base` serves the sensor `entity_id`.
pub open spec fn state_address(base: Seq<char>, entity_id: Seq<char>) -> Seq<char> {
    without_trailing_slashes(base) + "/api/states/"@ + entity_id
}

/// The value of the authorization header for `token`.
pub open spec fn bearer(token: Seq<char>) -> Seq<char> {
    "Bearer "@ + token
}

/// Cutting `s` after its last character that is not a slash removes the
/// trailing slashes.
proof fn lemma_without_trailing_slashes(s: Seq<char>, k: int)
    requires
        0 <= k <= s.len(),
        forall|i: int| k <= i < s.len() ==> #[trigger] s[i] == '/',
        k > 0 ==> s[k - 1] != '/',
    ensures
        without_trailing_slashes(s) == s.take(k),
    decreases s.len() - k,
{
    if k < s.len() {
        let t = s.drop_last();
        assert forall|i: int| k <= i < t.len() implies #[trigger] t[i] == '/' by {
            assert(t[i] == s[i]);
        }
        lemma_without_trailing_slashes(t, k);
        assert(t.take(k) =~= s.take(k));
    } else {
        assert(s.take(k) =~= s);
    }
}

/// A telemetry source and the token that opens it.
#[derive(Debug, Clone)]
pub struct HomeAssistant {
    url: String,
    token: String,
}

impl HomeAssistant {
    /// Base address of the source.
    pub closed spec fn base(&self) -> Seq<char> {
        self.url@
    }

    /// Token sent with every request.
    pub closed spec fn secret(&self) -> Seq<char> {
        self.token@
    }

    /// A source at `url`, opened by `token`.
    pub fn new(url: String, token: String) -> (ha: Self)
        ensures
            ha.base() == url@,
            ha.secret() == token@,
    {
        Self { url, token }
    }

    /// The address to ask for the state of `entity_id`.
    pub fn state_url(&self, entity_id: &str) -> (address: String)
        ensures
            address@ == state_address(self.base(), entity_id@),
    {
        let base = chars_of(self.url.as_str());
        let mut k: usize = base.len();
        while k > 0 && base[k - 1] == '/'
            invariant
                k <= base.len(),
                forall|i: int| k <= i < base.len() ==> #[trigger] base@[i] == '/',
            decreases k,
        {
            k -= 1;
        }
        proof {
            lemma_without_trailing_slashes(base@, k as int);
        }
        let mut address = String::new();
        append_chars(&mut address, &slice_chars(&base, 0, k));
        append_chars(&mut address, &chars_of("/api/states/"));
        append_chars(&mut address, &chars_of(entity_id));
        assert(address@ =~= state_address(self.base(), entity_id@));
        address
    }

    /// The value of the authorization header.
    pub fn authorization(&self) -> (header: String)
        ensures
            header@ == bearer(self.secret()),
    {
        let mut header = String::new();
        append_chars(&mut header, &chars_of("Bearer "));
        append_chars(&mut header, &chars_of(self.token.as_str()));
        assert(header@ =~= bearer(self.secret()));
        header
    }
}

} // verus!
