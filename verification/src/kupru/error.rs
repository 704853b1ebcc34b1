//! KupruError — sovereign error taxonomy.

use vstd::prelude::*;

verus! {

/// Sovereign error variants for the KUPRU crypto layer.
#[derive(Debug, Clone)]
pub enum KupruError {
    InvalidInput(String),
    SealBroken(String),
    Io(String),
    Crypto(String),
    /// Credential has exceeded ŠATTĀTU_MAX (54h) or clock-skew limit.
    Expired(String),
    /// Operation denied by sovereign policy (DŪRU).
    AccessDenied(String),
}

/// The display text of an error.
pub open spec fn kupru_error_text(e: KupruError) -> Seq<char> {
    match e {
        KupruError::InvalidInput(m) => "LEMNĪ (invalid input): "@ + m@,
        KupruError::SealBroken(m) => "NAKRU (seal broken): "@ + m@,
        KupruError::Io(m) => "KUPRU IO: "@ + m@,
        KupruError::Crypto(m) => "KUPRU crypto: "@ + m@,
        KupruError::Expired(m) => "ŠANÛ ŠATTĀTI (expired): "@ + m@,
        KupruError::AccessDenied(m) => "DŪRU (access denied): "@ + m@,
    }
}

impl KupruError {
    /// The display text: the Akkadian label of the variant, then the message.
    pub fn to_string(&self) -> (s: String)
        ensures
            s@ == kupru_error_text(*self),
    {
        let (label, m) = match self {
            KupruError::InvalidInput(m) => ("LEMNĪ (invalid input): ", m),
            KupruError::SealBroken(m) => ("NAKRU (seal broken): ", m),
            KupruError::Io(m) => ("KUPRU IO: ", m),
            KupruError::Crypto(m) => ("KUPRU crypto: ", m),
            KupruError::Expired(m) => ("ŠANÛ ŠATTĀTI (expired): ", m),
            KupruError::AccessDenied(m) => ("DŪRU (access denied): ", m),
        };
        let mut s = label.to_owned();
        s.append(m.as_str());
        s
    }
}

/// Result of a KUPRU operation.
pub type KupruResult<T> = Result<T, KupruError>;

} // verus!
